use cairo_vm::math_utils::{is_quad_residue, BigNat, MathError};
use cairo_vm::test_helpers::math_test_utils::{is_quad_residue_mod_prime, max_div, rc_bound};
use cairo_vm::utils::cairo_prime;

/// Returns 1 for a known quadratic residue: 4 = 2² mod CAIRO_PRIME.
#[test]
fn test_quad_residue_mod_prime_returns_1_for_residue() {
    assert_eq!(is_quad_residue_mod_prime(&BigNat::from_u64(4)), 1);
}

/// Returns 0 for a known non-residue: 3 is not a square mod CAIRO_PRIME.
#[test]
fn test_quad_residue_mod_prime_returns_0_for_non_residue() {
    assert_eq!(is_quad_residue_mod_prime(&BigNat::from_u64(3)), 0);
}

#[test]
fn quad_residue_of_zero_and_one() {
    assert_eq!(is_quad_residue_mod_prime(&BigNat::from_u64(0)), 1);
    assert_eq!(is_quad_residue_mod_prime(&BigNat::from_u64(1)), 1);
}

#[test]
fn quad_residue_modulo_small_prime() {
    let seven = BigNat::from_u64(7);
    // the squares modulo 7 are 1, 2 and 4
    assert!(matches!(is_quad_residue(&BigNat::from_u64(2), &seven), Ok(true)));
    assert!(matches!(is_quad_residue(&BigNat::from_u64(4), &seven), Ok(true)));
    assert!(matches!(is_quad_residue(&BigNat::from_u64(3), &seven), Ok(false)));
    assert!(matches!(is_quad_residue(&BigNat::from_u64(5), &seven), Ok(false)));
    // 9 and 10 are taken modulo 7 first: 2 is a square, 3 is not
    assert!(matches!(is_quad_residue(&BigNat::from_u64(9), &seven), Ok(true)));
    assert!(matches!(is_quad_residue(&BigNat::from_u64(10), &seven), Ok(false)));
}

#[test]
fn quad_residue_modulo_zero_is_an_error() {
    assert!(matches!(
        is_quad_residue(&BigNat::from_u64(4), &BigNat::from_u64(0)),
        Err(MathError::IsQuadResidueZeroPrime)
    ));
}

#[test]
fn rc_bound_is_two_to_the_128() {
    let b = rc_bound();
    assert_eq!(b.digits, vec![0, 0, 0, 0, 1]);
}

#[test]
fn max_div_is_prime_over_rc_bound() {
    let d = max_div();
    assert_eq!(d.digits, vec![0, 0, 17, 0x0800_0000]);
}

#[test]
fn cairo_prime_digits() {
    assert_eq!(cairo_prime().digits, vec![1, 0, 0, 0, 0, 0, 17, 0x0800_0000]);
    assert!(!cairo_prime().is_zero());
    assert!(!cairo_prime().is_one());
    assert!(BigNat::from_u64(1).is_one());
    assert!(BigNat { digits: vec![0, 0] }.is_zero());
    assert!(BigNat { digits: vec![1, 0, 0] }.is_one());
    assert!(!BigNat { digits: vec![1, 0, 1] }.is_one());
}

#[test]
fn quad_residue_modulo_one_and_two() {
    let one = BigNat::from_u64(1);
    let two = BigNat::from_u64(2);
    // modulo 1 every number is 0, and 0 to the power 0 is 1, which is 0 modulo 1
    assert!(matches!(is_quad_residue(&BigNat::from_u64(2), &one), Ok(false)));
    assert!(matches!(is_quad_residue(&BigNat::from_u64(3), &two), Ok(true)));
    assert!(matches!(is_quad_residue(&BigNat::from_u64(4), &two), Ok(false)));
}
