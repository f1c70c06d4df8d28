use simplex_noise::simplex::Simplex;

#[test]
fn new_uses_default_seed() {
    let s = Simplex::new();
    assert_eq!(s.seed(), 0);
    assert_eq!(Simplex::DEFAULT_SEED, 0);
}

#[test]
fn default_matches_new() {
    assert_eq!(Simplex::default(), Simplex::new());
}

#[test]
fn set_seed_changes_seed() {
    let s = Simplex::new().set_seed(42);
    assert_eq!(s.seed(), 42);
}

#[test]
fn reseed_with_current_seed_is_identity() {
    let s = Simplex::new().set_seed(1234);
    let r = s.clone().set_seed(s.seed());
    assert_eq!(r, s);
    for x in -8i64..8 {
        for y in -8i64..8 {
            assert_eq!(r.get2(x, y), s.get2(x, y));
            assert_eq!(r.get3(x, y, x + y), s.get3(x, y, x + y));
            assert_eq!(r.get4(x, y, -x, -y), s.get4(x, y, -x, -y));
        }
    }
}

#[test]
fn repeated_calls_are_identical() {
    let s = Simplex::new().set_seed(99);
    for x in -16i64..16 {
        for y in -16i64..16 {
            assert_eq!(s.get2(x, y), s.get2(x, y));
            assert_eq!(s.get3(x, y, 5), s.get3(x, y, 5));
            assert_eq!(s.get4(x, y, 5, -3), s.get4(x, y, 5, -3));
        }
    }
}

#[test]
fn same_seed_same_field() {
    let a = Simplex::new().set_seed(7);
    let b = Simplex::new().set_seed(7);
    for x in -16i64..16 {
        for y in -16i64..16 {
            assert_eq!(a.get2(x, y), b.get2(x, y));
            assert_eq!(a.get3(x, y, y - x), b.get3(x, y, y - x));
            assert_eq!(a.get4(x, y, y, x), b.get4(x, y, y, x));
        }
    }
}

#[test]
fn different_seeds_give_different_fields() {
    let a = Simplex::new();
    let b = Simplex::new().set_seed(1);
    let mut differs = false;
    for x in 0i64..32 {
        for y in 0i64..32 {
            if a.get2(x, y) != b.get2(x, y) {
                differs = true;
            }
        }
    }
    assert!(differs);
}
