use omnitrace_task::permille::{into_permille, CUTOFF};

#[test]
fn permille_is_exact_for_small_counts() {
    assert_eq!(into_permille(0, 10), 0);
    assert_eq!(into_permille(3, 10), 300);
    assert_eq!(into_permille(7, 10), 700);
    assert_eq!(into_permille(1, 3), 333);
    assert_eq!(into_permille(2, 3), 666);
    assert_eq!(into_permille(999, 1000), 999);
}

#[test]
fn permille_saturates_at_total() {
    assert_eq!(into_permille(10, 10), 1000);
    assert_eq!(into_permille(15, 10), 1000);
    assert_eq!(into_permille(0, 0), 1000);
    assert_eq!(into_permille(u64::MAX, u64::MAX), 1000);
    assert_eq!(into_permille(u64::MAX, 1), 1000);
}

#[test]
fn permille_of_large_counts_divides_first() {
    assert_eq!(CUTOFF, u64::MAX / 1000);
    assert_eq!(into_permille(CUTOFF, u64::MAX), 0);
    assert_eq!(into_permille(CUTOFF + 1, u64::MAX), 1);
    assert_eq!(into_permille(u64::MAX / 2, u64::MAX), 500);
    assert_eq!(into_permille(u64::MAX - 1, u64::MAX), 1000);
}

#[test]
fn permille_never_decreases_as_the_count_grows() {
    for total in [1u64, 3, 7, 10, 999, 1000, 1001, 4096] {
        let mut before = 0;
        for current in 0..=total + 2 {
            let now = into_permille(current, total);
            assert!(before <= now);
            assert!(now <= 1000);
            before = now;
        }
        assert_eq!(before, 1000);
    }
    // across the switch from multiplying first to dividing first
    let total = u64::MAX;
    let mut before = 0;
    for current in CUTOFF - 50..CUTOFF + 50 {
        let now = into_permille(current, total);
        assert!(before <= now);
        before = now;
    }
    let total = CUTOFF + 40;
    let mut before = 0;
    for current in CUTOFF - 50..CUTOFF + 50 {
        let now = into_permille(current, total);
        assert!(before <= now);
        assert!(now <= 1000);
        before = now;
    }
}

#[test]
fn permille_of_large_counts_is_at_most_one_above_the_exact_quotient() {
    for (current, total) in [
        (CUTOFF + 1, CUTOFF + 2),
        (CUTOFF + 1, CUTOFF + 1000),
        (u64::MAX / 3, u64::MAX),
        (u64::MAX - 7, u64::MAX - 3),
    ] {
        let exact = (current as u128 * 1000 / total as u128) as u16;
        let got = into_permille(current, total);
        assert!(exact <= got && got <= exact + 1);
    }
}
