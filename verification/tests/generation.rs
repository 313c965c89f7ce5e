use rand::Rng;
use rand::SeedableRng;
use rand_chacha::ChaChaRng;

use rand_fixture::random_array;
use rand_fixture::random_string_array;
use rand_fixture::try_random_array;
use rand_fixture::try_random_string_array;
use rand_fixture::GenError;

#[test]
fn same_seed_reproduces_integers() {
    let a = random_array(42, -100, 100, 64);
    let b = random_array(42, -100, 100, 64);
    assert_eq!(a, b);
}

#[test]
fn same_seed_reproduces_strings() {
    let a = random_string_array(42, 64);
    let b = random_string_array(42, 64);
    assert_eq!(a, b);
}

#[test]
fn integer_elements_lie_in_range() {
    let v = random_array(7, -3, 9, 100);
    for e in &v {
        assert!(-3 <= *e && *e < 9);
    }
}

#[test]
fn integer_length_matches_request() {
    assert_eq!(random_array(5, 0, 10, 0).len(), 0);
    assert_eq!(random_array(5, 0, 10, 1).len(), 1);
    assert_eq!(random_array(5, 0, 10, 100).len(), 100);
    assert_eq!(random_string_array(5, 0).len(), 0);
    assert_eq!(random_string_array(5, 17).len(), 17);
}

#[test]
fn distinct_seeds_differ() {
    let a = random_array(1, 0, 1000, 16);
    let b = random_array(2, 0, 1000, 16);
    assert_ne!(a, b);
}

#[test]
fn present_strings_are_short_spaces() {
    let v = random_string_array(3, 200);
    for slot in &v {
        if let Some(s) = slot {
            assert!(s.len() < 20);
            assert!(s.chars().all(|c| c == ' '));
        }
    }
}

#[test]
fn seed_zero_integer_fixture() {
    let v = random_array(0, 0, 10, 5);
    assert_eq!(v, vec![5, 0, 4, 0, 8]);
}

#[test]
fn seed_zero_string_fixture() {
    let v = random_string_array(0, 10);
    let lens: Vec<Option<usize>> = v.iter().map(|s| s.as_ref().map(|s| s.len())).collect();
    let expected: Vec<Option<usize>> = vec![
        None,
        Some(17),
        None,
        Some(2),
        None,
        None,
        Some(5),
        None,
        None,
        Some(14),
    ];
    assert_eq!(lens, expected);
}

#[test]
fn unit_range_is_constant() {
    let v = random_array(11, 5, 6, 50);
    for e in &v {
        assert_eq!(*e, 5);
    }
}

#[test]
fn unit_range_is_constant_at_extremes() {
    for e in &random_array(11, i32::MAX - 1, i32::MAX, 8) {
        assert_eq!(*e, i32::MAX - 1);
    }
    for e in &random_array(11, i32::MIN, i32::MIN + 1, 8) {
        assert_eq!(*e, i32::MIN);
    }
}

#[test]
fn full_range_draws_stay_in_bounds() {
    let v = random_array(13, i32::MIN, i32::MAX, 32);
    assert_eq!(v.len(), 32);
    for e in &v {
        assert!(*e < i32::MAX);
    }
}

#[test]
fn long_string_sequence_mixes_presence() {
    let v = random_string_array(0, 10_000);
    assert!(v.iter().any(|s| s.is_some()));
    assert!(v.iter().any(|s| s.is_none()));
}

#[test]
fn matches_direct_chacha_integers() {
    let mut rng: ChaChaRng = SeedableRng::seed_from_u64(77);
    let direct: Vec<i32> = (0..40).map(|_| rng.gen_range(-50..50)).collect();
    assert_eq!(random_array(77, -50, 50, 40), direct);
}

#[test]
fn matches_direct_chacha_strings() {
    let mut rng: ChaChaRng = SeedableRng::seed_from_u64(77);
    let mut direct: Vec<Option<String>> = Vec::new();
    for _ in 0..40 {
        if rng.gen_bool(0.5) {
            direct.push(None);
        } else {
            let len: usize = rng.gen_range(0..20);
            direct.push(Some(" ".repeat(len)));
        }
    }
    assert_eq!(random_string_array(77, 40), direct);
}

#[test]
fn empty_range_is_invalid() {
    assert_eq!(try_random_array(0, 5, 5, 10), Err(GenError::InvalidRange));
    assert_eq!(try_random_array(0, 7, -7, 10), Err(GenError::InvalidRange));
}

#[test]
fn zero_length_is_invalid() {
    assert_eq!(try_random_array(0, 0, 10, 0), Err(GenError::InvalidLength));
    assert_eq!(try_random_string_array(0, 0), Err(GenError::InvalidLength));
}

#[test]
fn hardened_matches_unhardened() {
    assert_eq!(try_random_array(9, -4, 4, 12), Ok(random_array(9, -4, 4, 12)));
    assert_eq!(try_random_string_array(9, 12), Ok(random_string_array(9, 12)));
}
