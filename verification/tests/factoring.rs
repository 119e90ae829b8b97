use deet::factor::{is_prime, prime_factors};

#[test]
fn test_is_prime() {
    assert!(is_prime(2));
    assert!(is_prime(3));
    assert!(is_prime(5));
    assert!(is_prime(7));
    assert!(is_prime(97));
    assert!(!is_prime(0));
    assert!(!is_prime(1));
    assert!(!is_prime(4));
    assert!(!is_prime(9));
    assert!(!is_prime(100));
}

#[test]
fn test_prime_factors() {
    assert_eq!(prime_factors(1), Vec::<u32>::new());
    assert_eq!(prime_factors(2), vec![2]);
    assert_eq!(prime_factors(12), vec![2, 2, 3]);
    assert_eq!(prime_factors(97), vec![97]);
    assert_eq!(prime_factors(100), vec![2, 2, 5, 5]);
    assert_eq!(prime_factors(2 * 3 * 5 * 7 * 11), vec![2, 3, 5, 7, 11]);
}
