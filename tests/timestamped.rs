use std::cell::Cell;
use std::cmp::Ordering;
use std::rc::Rc;

use comparator_ffi::{
    compare_with_ts_compare_callback, compare_with_ts_compare_ts_callback,
    compare_with_ts_compare_without_ts_callback, destructor_with_ts_callback,
    name_with_ts_callback, ComparatorWithTSCallback, NulError,
};

// Keys are a user key followed by an 8-byte big-endian timestamp; newer
// versions sort first.
fn split(key: &[u8]) -> (&[u8], &[u8]) {
    key.split_at(key.len() - 8)
}

fn compare_ts(a: &[u8], b: &[u8]) -> Ordering {
    b.cmp(a)
}

fn compare_full(a: &[u8], b: &[u8]) -> Ordering {
    let (ua, ta) = split(a);
    let (ub, tb) = split(b);
    ua.cmp(ub).then(compare_ts(ta, tb))
}

fn compare_without_ts(a: &[u8], a_ts: bool, b: &[u8], b_ts: bool) -> Ordering {
    let ua = if a_ts { split(a).0 } else { a };
    let ub = if b_ts { split(b).0 } else { b };
    ua.cmp(ub)
}

fn key(user: &[u8], ts: u64) -> Vec<u8> {
    let mut k = user.to_vec();
    k.extend_from_slice(&ts.to_be_bytes());
    k
}

#[test]
fn timestamped_full_and_timestamp_orderings() {
    let cb = ComparatorWithTSCallback::new(
        b"user-key+ts",
        compare_full,
        compare_ts,
        compare_without_ts,
    )
    .unwrap();
    assert_eq!(name_with_ts_callback(&cb), b"user-key+ts\0");
    let a1 = key(b"a", 1);
    let a2 = key(b"a", 2);
    let b1 = key(b"b", 1);
    assert_eq!(compare_with_ts_compare_callback(&cb, &a2, &a1), -1);
    assert_eq!(compare_with_ts_compare_callback(&cb, &a1, &a2), 1);
    assert_eq!(compare_with_ts_compare_callback(&cb, &a1, &b1), -1);
    assert_eq!(compare_with_ts_compare_callback(&cb, &a1, &a1), 0);
    let t1 = 1u64.to_be_bytes();
    let t2 = 2u64.to_be_bytes();
    assert_eq!(compare_with_ts_compare_ts_callback(&cb, &t1, &t2), 1);
    assert_eq!(compare_with_ts_compare_ts_callback(&cb, &t2, &t1), -1);
    assert_eq!(compare_with_ts_compare_ts_callback(&cb, &t2, &t2), 0);
    assert_eq!(compare_with_ts_compare_ts_callback(&cb, b"", b""), 0);
    destructor_with_ts_callback(cb);
}

#[test]
fn timestamped_strips_by_flags() {
    let cb = ComparatorWithTSCallback::new(b"strip", compare_full, compare_ts, compare_without_ts)
        .unwrap();
    let a7 = key(b"a", 7);
    assert_eq!(compare_with_ts_compare_without_ts_callback(&cb, &a7, 1, b"a", 0), 0);
    assert_eq!(compare_with_ts_compare_without_ts_callback(&cb, b"a", 0, &a7, 1), 0);
    assert_eq!(compare_with_ts_compare_without_ts_callback(&cb, &a7, 0, b"a", 0), 1);
    assert_eq!(compare_with_ts_compare_without_ts_callback(&cb, &a7, 200, &a7, 9), 0);
}

#[test]
fn timestamped_forwards_all_four_flag_combinations() {
    // The host function reports the flags it was given as the ordering.
    let seen = |_a: &[u8], a_ts: bool, _b: &[u8], b_ts: bool| match (a_ts, b_ts) {
        (true, false) => Ordering::Greater,
        (false, true) => Ordering::Less,
        (true, true) => Ordering::Equal,
        (false, false) => Ordering::Equal,
    };
    let cb = ComparatorWithTSCallback::new(b"flags", compare_full, compare_ts, seen).unwrap();
    let cases: [(u8, u8, bool, bool); 6] = [
        (1, 0, true, false),
        (0, 1, false, true),
        (1, 1, true, true),
        (0, 0, false, false),
        (255, 0, true, false),
        (0, 2, false, true),
    ];
    for (a_flag, b_flag, a_ts, b_ts) in cases.iter() {
        let expected = match seen(b"k", *a_ts, b"k", *b_ts) {
            Ordering::Less => -1,
            Ordering::Equal => 0,
            Ordering::Greater => 1,
        };
        assert_eq!(
            compare_with_ts_compare_without_ts_callback(&cb, b"k", *a_flag, b"k", *b_flag),
            expected
        );
    }
}

#[test]
fn timestamped_without_ts_distinguishes_flag_pairs() {
    // Each flag combination gets its own answer from the host function.
    let by_flags = |_a: &[u8], a_ts: bool, _b: &[u8], b_ts: bool| {
        if a_ts && !b_ts {
            Ordering::Greater
        } else if !a_ts && b_ts {
            Ordering::Less
        } else if a_ts && b_ts {
            Ordering::Equal
        } else {
            Ordering::Less
        }
    };
    let cb = ComparatorWithTSCallback::new(b"pairs", compare_full, compare_ts, by_flags).unwrap();
    assert_eq!(compare_with_ts_compare_without_ts_callback(&cb, b"", 1, b"", 0), 1);
    assert_eq!(compare_with_ts_compare_without_ts_callback(&cb, b"", 0, b"", 1), -1);
    assert_eq!(compare_with_ts_compare_without_ts_callback(&cb, b"", 1, b"", 1), 0);
    assert_eq!(compare_with_ts_compare_without_ts_callback(&cb, b"", 0, b"", 0), -1);
}

#[test]
fn timestamped_name_with_nul_is_refused() {
    let r = ComparatorWithTSCallback::new(b"x\0", compare_full, compare_ts, compare_without_ts);
    assert_eq!(r.err(), Some(NulError { position: 1 }));
}

struct DropCounter(Rc<Cell<usize>>);

impl Drop for DropCounter {
    fn drop(&mut self) {
        self.0.set(self.0.get() + 1);
    }
}

#[test]
fn timestamped_destroy_releases_all_three_closures() {
    let drops = Rc::new(Cell::new(0usize));
    let g1 = DropCounter(drops.clone());
    let g2 = DropCounter(drops.clone());
    let g3 = DropCounter(drops.clone());
    let f = move |a: &[u8], b: &[u8]| {
        let _held = &g1;
        a.cmp(b)
    };
    let g = move |a: &[u8], b: &[u8]| {
        let _held = &g2;
        a.cmp(b)
    };
    let h = move |a: &[u8], _a_ts: bool, b: &[u8], _b_ts: bool| {
        let _held = &g3;
        a.cmp(b)
    };
    let cb = ComparatorWithTSCallback::new(b"counted", f, g, h).unwrap();
    assert_eq!(compare_with_ts_compare_ts_callback(&cb, b"2", b"1"), 1);
    assert_eq!(drops.get(), 0);
    destructor_with_ts_callback(cb);
    assert_eq!(drops.get(), 3);
    assert_eq!(Rc::strong_count(&drops), 1);
}
