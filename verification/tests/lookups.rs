use simplex_noise::permutation::PermutationTable;

#[test]
fn gradient_indices_stay_in_range() {
    for seed in [0u32, 1, 2, 0xFFFF_FFFF] {
        let t = PermutationTable::new(seed);
        for x in -40i64..40 {
            for y in -40i64..40 {
                assert!(t.get2(x, y) < 8);
                assert!(t.get3(x, y, x - y) < 12);
                assert!(t.get4(x, y, x - y, x + y) < 32);
            }
        }
    }
}

#[test]
fn lookups_are_total_at_extreme_coordinates() {
    let t = PermutationTable::new(3);
    for &c in &[i64::MIN, i64::MIN + 1, -1, 0, 1, i64::MAX - 1, i64::MAX] {
        assert!(t.get2(c, c) < 8);
        assert!(t.get3(c, c, c) < 12);
        assert!(t.get4(c, c, c, c) < 32);
    }
}

#[test]
fn lookups_wrap_with_period_256() {
    let t = PermutationTable::new(0);
    assert_eq!(t.get2(-1, -1), t.get2(255, 255));
    assert_eq!(t.get2(-300, 7), t.get2(-300 + 512, 7));
    assert_eq!(t.get3(1, 2, 3), t.get3(1 + 256, 2 - 256, 3));
    assert_eq!(t.get4(9, -9, 90, -90), t.get4(9 - 256, -9 + 256, 90, -90 - 256));
}

// The table is a permutation of the byte values, so walking one axis of the
// lattice drives the hash through the whole table and every gradient index of
// each arity shows up.
#[test]
fn every_gradient_index_occurs() {
    let t = PermutationTable::new(0);
    let mut seen2 = [false; 8];
    let mut seen3 = [false; 12];
    let mut seen4 = [false; 32];
    for x in 0i64..256 {
        seen2[t.get2(x, 0)] = true;
        seen3[t.get3(x, 0, 0)] = true;
        seen4[t.get4(x, 0, 0, 0)] = true;
    }
    assert!(seen2.iter().all(|&s| s));
    assert!(seen3.iter().all(|&s| s));
    assert!(seen4.iter().all(|&s| s));
}

#[test]
fn construction_is_deterministic() {
    let a = PermutationTable::new(77);
    let b = PermutationTable::new(77);
    assert_eq!(a, b);
    assert_ne!(a, PermutationTable::new(78));
}

// Values pinned once from this crate's documented scheme (an MMIX linear
// congruential generator driving a Fisher-Yates shuffle).
#[test]
fn pinned_lookup_values_seed_zero() {
    let t = PermutationTable::new(0);
    assert_eq!(t.get2(0, 0), 6);
    assert_eq!(t.get2(1, 0), 4);
    assert_eq!(t.get2(-1, -1), 6);
    assert_eq!(t.get2(-300, 7), 0);
    assert_eq!(t.get3(0, 0, 0), 8);
    assert_eq!(t.get3(1, 2, 3), 1);
    assert_eq!(t.get3(-5, -6, -7), 6);
    assert_eq!(t.get4(0, 0, 0, 0), 9);
    assert_eq!(t.get4(1, 1, 1, 1), 19);
    assert_eq!(t.get4(-2, 3, -4, 5), 5);
}

#[test]
fn pinned_lookup_values_seed_one() {
    let t = PermutationTable::new(1);
    assert_eq!(t.get2(0, 0), 1);
}
