use alvr_core::scalar::Scalar;
use alvr_core::wide::Wide;

fn scalar(value: f32) -> Scalar {
    Scalar::from_bits(value.to_bits())
}

#[test]
fn small_numbers_go_in_and_out() {
    assert_eq!(Wide::from_u64(0).to_u64(), Some(0));
    assert_eq!(Wide::from_u64(77).to_u64(), Some(77));
    assert_eq!(Wide::from_u64(u64::MAX).to_u64(), Some(u64::MAX));
}

#[test]
fn sums_carry_into_the_next_digit() {
    let top = Wide::from_u64(u64::MAX);
    let one = Wide::from_u64(1);
    let sum = top.add(&one);
    assert_eq!(sum.to_u64(), None);
    assert_eq!(sum.sub(&one).to_u64(), Some(u64::MAX));
    assert_eq!(sum.sub(&top).to_u64(), Some(1));
    assert_eq!(sum.add(&sum).sub(&sum).sub(&top).to_u64(), Some(1));
    assert_eq!(Wide::from_u64(40).add(&Wide::from_u64(2)).to_u64(), Some(42));
}

#[test]
fn numbers_are_ordered_by_their_value() {
    let small = Wide::from_u64(5);
    let large = Wide::from_u64(9);
    let huge = Wide::from_u64(u64::MAX).add(&Wide::from_u64(1));
    assert!(small.less(&large));
    assert!(!large.less(&small));
    assert!(!small.less(&small));
    assert!(large.less(&huge));
    assert!(!huge.less(&large));
    assert!(huge.less(&huge.add(&small)));
}

#[test]
fn distances_do_not_depend_on_the_order() {
    let small = Wide::from_u64(5);
    let large = Wide::from_u64(9);
    assert_eq!(small.distance(&large).to_u64(), Some(4));
    assert_eq!(large.distance(&small).to_u64(), Some(4));
    assert_eq!(large.distance(&large).to_u64(), Some(0));
    let huge = Wide::from_u64(u64::MAX).add(&large);
    assert_eq!(huge.distance(&Wide::from_u64(u64::MAX)).to_u64(), Some(9));
}

#[test]
fn scalars_are_whole_numbers_of_the_smallest_step() {
    assert_eq!(Wide::from_scalar(scalar(0.0)).to_u64(), Some(0));
    assert_eq!(Wide::from_scalar(scalar(-0.0)).to_u64(), Some(0));
    assert_eq!(Wide::from_scalar(Scalar::from_bits(1)).to_u64(), Some(1));
    assert_eq!(Wide::from_scalar(Scalar::from_bits(0x007f_ffff)).to_u64(), Some(0x007f_ffff));
    assert_eq!(Wide::from_scalar(scalar(f32::MIN_POSITIVE)).to_u64(), Some(1 << 23));
    assert_eq!(Wide::from_scalar(Scalar::from_bits(0x0100_0000)).to_u64(), Some(1 << 24));
    assert_eq!(Wide::from_scalar(Scalar::from_bits(0x8100_0001)).to_u64(), Some((1 << 24) + 2));
    assert_eq!(Wide::from_scalar(scalar(1.0)).to_u64(), None);
}

#[test]
fn neighbouring_scalars_are_one_step_of_their_size_apart() {
    let one = Wide::from_scalar(scalar(1.0));
    let above = Wide::from_scalar(Scalar::from_bits(1.0_f32.to_bits() + 1));
    let below = Wide::from_scalar(Scalar::from_bits(1.0_f32.to_bits() - 1));
    let step_up = above.distance(&one);
    let step_down = one.distance(&below);
    assert!(step_down.less(&step_up));
    assert_eq!(step_down.add(&step_down).distance(&step_up).to_u64(), Some(0));
    let largest = Wide::from_scalar(scalar(f32::MAX));
    let sum = largest.add(&largest);
    assert!(largest.less(&sum));
    assert_eq!(sum.sub(&largest).distance(&largest).to_u64(), Some(0));
}
