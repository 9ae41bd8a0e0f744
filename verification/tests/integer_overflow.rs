use numerical_methods::integer_overflow::{get_max_number, get_number_of_bits};

#[test]
fn number_of_bits_is_thirty_two() {
    assert_eq!(get_number_of_bits(), 32);
    assert_eq!(get_number_of_bits(), u32::BITS);
}

#[test]
fn max_number_is_all_ones() {
    assert_eq!(get_max_number(), 4294967295);
    assert_eq!(get_max_number(), u32::MAX);
    assert_eq!(get_max_number().count_ones(), get_number_of_bits());
}

#[test]
fn max_number_plus_one_wraps_to_zero() {
    assert_eq!(get_max_number().wrapping_add(1), 0);
}

#[test]
fn number_of_bits_is_the_first_power_of_two_that_wraps() {
    let bits = get_number_of_bits();
    assert_eq!(1u32.checked_shl(bits), None);
    assert_eq!(1u64 << bits, u64::from(get_max_number()) + 1);
    for exponent in 0..bits {
        assert_ne!(1u32 << exponent, 0);
    }
}
